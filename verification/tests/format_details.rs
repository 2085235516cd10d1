use imgcrsh::formats::avif::{AvifConfig, AvifEncoder};
use imgcrsh::color::{extract_icc_from_jpeg, get_display_p3_icc};
use imgcrsh::diagnostics::{app2_segments, extract_icc, App2Kind};
use imgcrsh::error::ImageError;
use imgcrsh::formats::gif::{
    gif_frame_parts, gif_quality_range, palette_to_gif, threshold_alpha, GifConfig, GifEncoderImpl,
};
use imgcrsh::formats::jpeg::{
    chroma_sampling_sizes, finish_jpeg_stream, jpeg_encode_settings, rgba_to_rgb,
    ChromaSubsampling, JpegConfig, JpegEncoder,
};
use imgcrsh::formats::jxl::{effort_to_speed, JxlConfig, JxlEncoder, JxlSpeed};
use imgcrsh::formats::png::{png_options_plan, PngConfig, PngEncoder};
use imgcrsh::formats::webp::{finish_webp_stream, WebpConfig, WebpEncoder};
use imgcrsh::formats::Encoder;

fn solid(n: usize, px: [u8; 4]) -> Vec<u8> {
    (0..n).flat_map(|_| px).collect()
}

fn le32(b: &[u8]) -> u32 {
    u32::from_le_bytes([b[0], b[1], b[2], b[3]])
}

#[test]
fn test_jpeg_profile_reads_back() {
    let icc = get_display_p3_icc();
    let rgba = solid(64, [10, 120, 240, 255]);
    let out = JpegEncoder::encode(&rgba, 8, 8, &JpegConfig::default(), Some(&icc)).unwrap();
    assert_eq!(&out[0..2], &[0xFF, 0xD8]);
    assert_eq!(extract_icc_from_jpeg(&out), Some(icc));
}

#[test]
fn test_jpeg_large_profile_is_chunked_and_reads_back() {
    // three chunks of at most 65519 bytes
    let icc: Vec<u8> = (0..150_000u32).map(|i| (i % 251) as u8).collect();
    let rgba = solid(16, [0, 0, 0, 255]);
    let out = JpegEncoder::encode(&rgba, 4, 4, &JpegConfig::default(), Some(&icc)).unwrap();
    let markers = out
        .windows(16)
        .filter(|w| w[0] == 0xFF && w[1] == 0xE2 && &w[4..16] == b"ICC_PROFILE\0")
        .count();
    assert_eq!(markers, 3);
    assert_eq!(extract_icc_from_jpeg(&out), Some(icc));
}

#[test]
fn test_finish_jpeg_stream_errors() {
    let icc = vec![0u8; 200];
    assert_eq!(
        finish_jpeg_stream(vec![0x00, 0x01, 0x02], Some(&icc)),
        Err(ImageError::MissingJpegSoi)
    );
    // APP0 whose length runs past the end of the stream
    assert_eq!(
        finish_jpeg_stream(vec![0xFF, 0xD8, 0xFF, 0xE0, 0x00, 0x40, 0x00], Some(&icc)),
        Err(ImageError::MalformedJpeg)
    );
    assert_eq!(finish_jpeg_stream(vec![1, 2, 3], None), Ok(vec![1, 2, 3]));
}

#[test]
fn test_finish_jpeg_stream_inserts_after_app0() {
    let icc: Vec<u8> = (0..130u8).collect();
    let jpeg = vec![0xFF, 0xD8, 0xFF, 0xE0, 0x00, 0x04, 0xAA, 0xBB, 0xFF, 0xD9];
    let out = finish_jpeg_stream(jpeg.clone(), Some(&icc)).unwrap();
    // SOI and the APP0 segment stay first
    assert_eq!(&out[0..8], &jpeg[0..8]);
    // then one APP2 segment: marker, length, identifier, number 1 of 1, payload
    assert_eq!(&out[8..10], &[0xFF, 0xE2]);
    let seg_len = u16::from_be_bytes([out[10], out[11]]) as usize;
    assert_eq!(seg_len, 2 + 14 + icc.len());
    assert_eq!(&out[12..24], b"ICC_PROFILE\0");
    assert_eq!(&out[24..26], &[1, 1]);
    assert_eq!(&out[26..26 + icc.len()], &icc[..]);
    // the rest of the stream follows unchanged
    assert_eq!(&out[26 + icc.len()..], &jpeg[8..]);
    assert_eq!(extract_icc_from_jpeg(&out), Some(icc));
}

#[test]
fn test_jpeg_settings() {
    let lossless = JpegConfig::default().with_lossless(true);
    assert_eq!(jpeg_encode_settings(&lossless), (100, ChromaSubsampling::Yuv444));
    let lossy = JpegConfig::default().with_quality(60).with_chroma_subsampling(ChromaSubsampling::Yuv422);
    assert_eq!(jpeg_encode_settings(&lossy), (60, ChromaSubsampling::Yuv422));
    assert_eq!(chroma_sampling_sizes(ChromaSubsampling::Yuv444), (1, 1));
    assert_eq!(chroma_sampling_sizes(ChromaSubsampling::Yuv422), (2, 1));
    assert_eq!(chroma_sampling_sizes(ChromaSubsampling::Yuv420), (2, 2));
}

#[test]
fn test_jpeg_quality_clamps() {
    assert_eq!(JpegConfig::default().with_quality(0).quality, 1);
    assert_eq!(JpegConfig::default().with_quality(250).quality, 100);
    assert_eq!(JpegConfig::default().with_quality(42).quality, 42);
}

#[test]
fn test_rgba_to_rgb_drops_alpha() {
    assert_eq!(rgba_to_rgb(&[1, 2, 3, 4, 5, 6, 7, 8]), vec![1, 2, 3, 5, 6, 7]);
    assert_eq!(rgba_to_rgb(&[1, 2, 3, 4, 5]), vec![1, 2, 3]);
    assert_eq!(rgba_to_rgb(&[]), Vec::<u8>::new());
}

#[test]
fn test_webp_profile_layout() {
    let icc: Vec<u8> = (0..133u8).collect(); // odd size: one pad byte
    let rgba = solid(16, [200, 100, 50, 255]);
    let out = WebpEncoder::encode(&rgba, 4, 4, &WebpConfig::default(), Some(&icc)).unwrap();
    assert_eq!(&out[0..4], b"RIFF");
    assert_eq!(le32(&out[4..8]) as usize, out.len() - 8);
    assert_eq!(&out[8..12], b"WEBP");
    assert_eq!(&out[12..16], b"VP8X");
    assert_eq!(le32(&out[16..20]), 10);
    assert_eq!(le32(&out[20..24]), 0x20);
    assert_eq!(&out[24..27], &[3, 0, 0]);
    assert_eq!(&out[27..30], &[3, 0, 0]);
    assert_eq!(&out[30..34], b"ICCP");
    assert_eq!(le32(&out[34..38]) as usize, icc.len());
    assert_eq!(&out[38..38 + icc.len()], &icc[..]);
    assert_eq!(out[38 + icc.len()], 0);
    assert_eq!(&out[39 + icc.len()..43 + icc.len()], b"VP8 ");
}

#[test]
fn test_webp_lossless_profile_layout() {
    let icc: Vec<u8> = vec![9u8; 140];
    let rgba = solid(16, [200, 100, 50, 255]);
    let config = WebpConfig::new().with_lossless(true);
    let out = WebpEncoder::encode(&rgba, 4, 4, &config, Some(&icc)).unwrap();
    assert_eq!(le32(&out[4..8]) as usize, out.len() - 8);
    assert_eq!(&out[38..38 + icc.len()], &icc[..]);
    assert_eq!(&out[38 + icc.len()..42 + icc.len()], b"VP8L");
}

#[test]
fn test_finish_webp_stream_errors() {
    let icc = vec![1u8; 4];
    assert_eq!(finish_webp_stream(vec![0u8; 12], Some(&icc), 1, 1), Err(ImageError::WebpTooShort));
    let mut not_riff = b"RIFX\0\0\0\0WEBPVP8 ".to_vec();
    assert_eq!(finish_webp_stream(not_riff.clone(), Some(&icc), 1, 1), Err(ImageError::WebpMissingRiff));
    not_riff[3] = b'F';
    not_riff[8] = b'X';
    assert_eq!(finish_webp_stream(not_riff, Some(&icc), 1, 1), Err(ImageError::WebpMissingWebp));
    let extended = b"RIFF\0\0\0\0WEBPVP8X".to_vec();
    assert_eq!(finish_webp_stream(extended, Some(&icc), 1, 1), Err(ImageError::WebpAlreadyExtended));
    assert_eq!(finish_webp_stream(vec![7u8; 3], None, 1, 1), Ok(vec![7u8; 3]));
}

#[test]
fn test_finish_webp_stream_even_profile() {
    let stream = b"RIFF\x0c\0\0\0WEBPVP8L\x00\x00\x00\x00".to_vec();
    let icc = vec![5u8; 4];
    let out = finish_webp_stream(stream.clone(), Some(&icc), 2, 3).unwrap();
    // 12 header + 18 VP8X + 8 + 4 ICCP + 8 image chunk, no padding
    assert_eq!(out.len(), 12 + 18 + 12 + 8);
    assert_eq!(le32(&out[4..8]) as usize, out.len() - 8);
    assert_eq!(&out[24..27], &[1, 0, 0]);
    assert_eq!(&out[27..30], &[2, 0, 0]);
    assert_eq!(&out[42..], &stream[12..]);
}

#[test]
fn test_threshold_alpha() {
    let rgba = [10, 20, 30, 127, 40, 50, 60, 128, 1, 2, 3, 0, 4, 5, 6, 255, 9, 9];
    let out = threshold_alpha(&rgba, 128);
    assert_eq!(out, vec![0, 0, 0, 0, 40, 50, 60, 255, 0, 0, 0, 0, 4, 5, 6, 255]);
    for px in out.chunks(4) {
        assert!(px[3] == 0 || px[3] == 255);
    }
    // threshold 0 makes every pixel opaque
    assert_eq!(threshold_alpha(&[1, 2, 3, 0], 0), vec![1, 2, 3, 255]);
}

#[test]
fn test_gif_palette_conversion() {
    let palette = vec![(1, 2, 3, 255), (4, 5, 6, 0), (7, 8, 9, 0)];
    let (rgb, transparent) = palette_to_gif(&palette);
    assert_eq!(rgb, vec![1, 2, 3, 4, 5, 6, 7, 8, 9]);
    assert_eq!(transparent, Some(1));
    let (_, none) = palette_to_gif(&vec![(1, 1, 1, 255)]);
    assert_eq!(none, None);
}

#[test]
fn test_gif_quality_range() {
    assert_eq!(gif_quality_range(80), (60, 80));
    assert_eq!(gif_quality_range(10), (0, 10));
    assert_eq!(gif_quality_range(20), (0, 20));
}

#[test]
fn test_gif_output_outline() {
    let rgba = solid(6, [0, 128, 255, 255]);
    let out = GifEncoderImpl::encode(&rgba, 3, 2, &GifConfig::default(), None).unwrap();
    assert_eq!(&out[0..6], b"GIF89a");
    assert_eq!(u16::from_le_bytes([out[6], out[7]]), 3);
    assert_eq!(u16::from_le_bytes([out[8], out[9]]), 2);
    assert_eq!(*out.last().unwrap(), 0x3B);
}

#[test]
fn test_gif_rejects_quality_above_100() {
    let rgba = solid(4, [0, 0, 0, 255]);
    let config = GifConfig { quality: 150, alpha_threshold: 128 };
    assert_eq!(GifEncoderImpl::encode(&rgba, 2, 2, &config, None), Err(ImageError::Encode));
    assert_eq!(GifConfig::default().with_quality(150).quality, 100);
}

#[test]
fn test_gif_quantize_with_transparency() {
    let mut rgba = solid(4, [255, 0, 0, 255]);
    rgba.extend(solid(4, [0, 0, 0, 10]));
    let (indices, palette, transparent) =
        GifEncoderImpl::quantize_with_transparency(&rgba, 4, 2, 80, 128).unwrap();
    assert_eq!(indices.len(), 8);
    assert_eq!(palette.len() % 3, 0);
    let t = transparent.unwrap();
    assert!(indices[4..].iter().all(|&i| i == t));
    assert!(indices[..4].iter().all(|&i| i != t));
}

#[test]
fn test_png_options_plan() {
    let plan = png_options_plan(&PngConfig::default());
    assert_eq!(plan.preset, 2);
    assert!(plan.strip_safe);
    assert!(!plan.interlace);
    assert!(plan.force);
    assert!(!plan.lossy_reductions);
    let high = PngConfig::default().with_optimization_level(9);
    assert_eq!(high.optimization_level, 6);
    assert_eq!(png_options_plan(&high).preset, 6);
}

#[test]
fn test_png_with_profile() {
    let icc = get_display_p3_icc();
    let rgba = solid(16, [1, 2, 3, 255]);
    let out = PngEncoder::encode(&rgba, 4, 4, &PngConfig::default().with_strip_metadata(false), Some(&icc)).unwrap();
    assert_eq!(&out[0..8], &[0x89, 0x50, 0x4E, 0x47, 0x0D, 0x0A, 0x1A, 0x0A]);
    assert!(out.windows(4).any(|w| w == b"iCCP"));
}

#[test]
fn test_jxl_speed_and_names() {
    assert_eq!(effort_to_speed(1), JxlSpeed::Lightning);
    assert_eq!(effort_to_speed(7), JxlSpeed::Squirrel);
    assert_eq!(effort_to_speed(9), JxlSpeed::Tortoise);
    assert_eq!(effort_to_speed(10), JxlSpeed::Glacier);
    assert_eq!(effort_to_speed(0), JxlSpeed::Glacier);
    assert_eq!(JxlConfig::default().with_effort(0).effort, 1);
    assert_eq!(JxlEncoder::extension(), "jxl");
    assert_eq!(JxlEncoder::mime_type(), "image/jxl");
}

#[test]
fn test_encoder_names() {
    assert_eq!(JpegEncoder::extension(), "jpg");
    assert_eq!(PngEncoder::mime_type(), "image/png");
    assert_eq!(WebpEncoder::extension(), "webp");
    assert_eq!(GifEncoderImpl::mime_type(), "image/gif");
}

#[test]
fn test_diagnostics_extract_icc() {
    let mut data = vec![0u8; 3];
    data.extend_from_slice(b"ICC_PROFILE\0");
    data.extend_from_slice(&[1, 1]);
    data.extend_from_slice(&[0, 0, 0, 6, 0xAA, 0xBB, 0xCC]);
    assert_eq!(extract_icc(&data), Some(vec![0, 0, 0, 6, 0xAA, 0xBB]));
    // a size field past the end is skipped
    let mut short = vec![0u8; 3];
    short.extend_from_slice(b"ICC_PROFILE\0");
    short.extend_from_slice(&[1, 1, 0, 0, 1, 0, 0, 0]);
    assert_eq!(extract_icc(&short), None);
}

#[test]
fn test_app2_segments_listing() {
    let mut data = vec![0xFF, 0xD8];
    // an ICC chunk, 2 of 3, with a 20-byte payload
    let mut icc_seg = vec![0xFF, 0xE2, 0x00, 2 + 14 + 20];
    icc_seg.extend_from_slice(b"ICC_PROFILE\0");
    icc_seg.extend_from_slice(&[2, 3]);
    icc_seg.extend_from_slice(&[0xAB; 20]);
    data.extend(icc_seg);
    // an MPF segment
    data.extend_from_slice(&[0xFF, 0xE2, 0x00, 0x08, b'M', b'P', b'F', 0x00, 1, 2]);
    // some other APP2 content
    data.extend_from_slice(&[0xFF, 0xE2, 0x00, 0x04, 9, 9]);
    // start of scan: the listing stops here
    data.extend_from_slice(&[0xFF, 0xDA, 0xFF, 0xE2, 0x00, 0x04, 1, 1]);
    let segs = app2_segments(&data);
    assert_eq!(segs.len(), 3);
    assert_eq!((segs[0].offset, segs[0].length), (2, 36));
    assert_eq!(segs[0].kind, App2Kind::IccProfile { chunk: 2, total: 3 });
    assert_eq!(segs[0].header.len(), 16);
    assert_eq!(&segs[0].header[0..12], b"ICC_PROFILE\0");
    assert_eq!((segs[1].offset, segs[1].length, segs[1].kind), (40, 8, App2Kind::Mpf));
    assert_eq!(segs[1].header, vec![b'M', b'P', b'F', 0x00, 1, 2]);
    assert_eq!((segs[2].offset, segs[2].length, segs[2].kind), (50, 4, App2Kind::Unknown));
    assert_eq!(segs[2].header, vec![9, 9]);
    assert!(app2_segments(&[0xFF, 0xD8, 0xFF, 0xD9]).is_empty());
}

#[test]
fn test_png_rejects_wrong_buffer_size() {
    let rgba = solid(3, [1, 2, 3, 255]);
    assert_eq!(
        PngEncoder::encode(&rgba, 2, 2, &PngConfig::default(), None),
        Err(ImageError::PixelBufferSize)
    );
}

#[test]
fn test_config_setters() {
    assert_eq!(GifConfig::new().with_alpha_threshold(7).alpha_threshold, 7);
    assert!(PngConfig::new().with_interlace(true).interlace);
    let interlaced = PngEncoder::encode(&solid(16, [9, 8, 7, 255]), 4, 4, &PngConfig::new().with_interlace(true), None).unwrap();
    // IHDR interlace method byte (offset 8 + 4 + 4 + 12)
    assert_eq!(interlaced[28], 1);
}

#[test]
fn test_standard_profiles_carry_icc_signature() {
    let p3 = get_display_p3_icc();
    assert_eq!(&p3[36..40], b"acsp");
    let srgb = imgcrsh::color::get_srgb_icc();
    assert_eq!(&srgb[36..40], b"acsp");
}

#[test]
fn test_jpeg_without_profile_has_none() {
    let rgba = solid(16, [255, 0, 0, 255]);
    let out = JpegEncoder::encode(&rgba, 4, 4, &JpegConfig::default(), None).unwrap();
    assert_eq!(&out[0..6], &[0xFF, 0xD8, 0xFF, 0xE0, 0x00, 0x10]);
    assert!(!(out[20] == 0xFF && out[21] == 0xE0));
    assert_eq!(extract_icc_from_jpeg(&out), None);
    let progressive = JpegEncoder::encode(&rgba, 4, 4, &JpegConfig::default().with_progressive(false), None).unwrap();
    assert_eq!(&progressive[0..4], &[0xFF, 0xD8, 0xFF, 0xE0]);
}

#[test]
fn test_gif_quantizer_ranges_for_opaque_image() {
    let rgba: Vec<u8> = (0..64u8).flat_map(|i| [i * 4, 255 - i, i, 255]).collect();
    let (indices, palette, transparent) =
        GifEncoderImpl::quantize_with_transparency(&rgba, 8, 8, 90, 128).unwrap();
    assert_eq!(indices.len(), 64);
    assert!(palette.len() >= 3 && palette.len() <= 768 && palette.len() % 3 == 0);
    assert!(indices.iter().all(|&i| 3 * (i as usize) < palette.len()));
    assert_eq!(transparent, None);
}

#[test]
fn test_gif_frame_parts_accepts_valid_output() {
    let palette = vec![(255, 0, 0, 255), (0, 0, 0, 0), (9, 8, 7, 0)];
    let r = gif_frame_parts(palette, vec![0, 1, 2, 0, 1, 1], 3, 2);
    assert_eq!(r, Ok((vec![0, 1, 2, 0, 1, 1], vec![255, 0, 0, 0, 0, 0, 9, 8, 7], Some(1))));
    let opaque = gif_frame_parts(vec![(1, 2, 3, 255)], vec![0], 1, 1);
    assert_eq!(opaque, Ok((vec![0], vec![1, 2, 3], None)));
}

#[test]
fn test_gif_frame_parts_rejects_invalid_output() {
    // empty palette
    assert_eq!(gif_frame_parts(vec![], vec![], 0, 0), Err(ImageError::Encode));
    // more than 256 entries
    assert_eq!(gif_frame_parts(vec![(0, 0, 0, 255); 257], vec![0], 1, 1), Err(ImageError::Encode));
    // index count differs from width * height
    assert_eq!(gif_frame_parts(vec![(0, 0, 0, 255)], vec![0, 0], 1, 1), Err(ImageError::Encode));
    // an index past the palette
    assert_eq!(gif_frame_parts(vec![(0, 0, 0, 255); 2], vec![0, 2], 2, 1), Err(ImageError::Encode));
}

#[test]
fn test_gif_of_empty_image_is_an_error() {
    assert!(GifEncoderImpl::encode(&[], 0, 0, &GifConfig::default(), None).is_err());
}

#[test]
fn test_webp_lossy_rejects_sizes_outside_its_range() {
    let lossy = WebpConfig { lossless: false, quality: 80 };
    assert_eq!(WebpEncoder::encode(&[], 0, 0, &lossy, None), Err(ImageError::Encode));
    let wide = vec![0u8; 16384 * 4];
    assert_eq!(WebpEncoder::encode(&wide, 16384, 1, &lossy, None), Err(ImageError::Encode));
    let ok = vec![0u8; 16383 * 4];
    assert!(WebpEncoder::encode(&ok, 16383, 1, &lossy, None).is_ok());
}

#[test]
fn test_webp_lossy_stream_outline() {
    let rgba = solid(16, [255, 0, 0, 255]);
    let out = WebpEncoder::encode(&rgba, 4, 4, &WebpConfig::default(), None).unwrap();
    assert_eq!(&out[0..4], b"RIFF");
    assert_eq!(&out[8..12], b"WEBP");
    assert_eq!(&out[12..16], b"VP8 ");
    let mut translucent = solid(16, [255, 0, 0, 128]);
    translucent[3] = 0;
    let out = WebpEncoder::encode(&translucent, 4, 4, &WebpConfig::default(), None).unwrap();
    assert_eq!(&out[12..16], b"VP8X");
}

#[test]
fn test_gif_opaque_image_has_no_transparent_index() {
    let rgba = solid(16, [10, 200, 30, 255]);
    let (indices, palette, transparent) =
        GifEncoderImpl::quantize_with_transparency(&rgba, 4, 4, 80, 128).unwrap();
    assert_eq!(indices.len(), 16);
    assert!(palette.len() >= 3 && palette.len() % 3 == 0);
    assert_eq!(transparent, None);
}

#[test]
fn test_avif_starts_with_its_file_type_box() {
    let rgba = solid(16, [255, 0, 0, 255]);
    let out = AvifEncoder::encode(&rgba, 4, 4, &AvifConfig::new().with_speed(10), None).unwrap();
    let expected: &[u8] = b"\x00\x00\x00\x18ftypavif\x00\x00\x00\x00mif1miaf";
    assert!(out.len() > 24);
    assert_eq!(&out[..24], expected);
}
