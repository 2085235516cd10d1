use imgcrsh::{ColorSpaceInfo, ColorTransformer, SourceColorSpace};

#[test]
fn test_default_color_info() {
    let info = ColorSpaceInfo::default();
    assert_eq!(info.space, SourceColorSpace::Srgb);
    assert!(info.icc_profile.is_none());
}

use imgcrsh::color::{
    classify_profile_description, detect_color_space, detect_color_space_from_exif,
    extract_color_info, extract_icc_from_jpeg, get_display_p3_icc, get_srgb_icc,
    profile_text_to_string, ProfileDescription,
};

#[test]
fn test_p3_icc_generation() {
    let icc = get_display_p3_icc();
    assert!(!icc.is_empty());
    // Verify it's a valid ICC profile (starts with profile size)
    assert!(icc.len() >= 128);
}

#[test]
fn test_srgb_icc_generation() {
    let icc = get_srgb_icc();
    assert!(!icc.is_empty());
    assert!(icc.len() >= 128);
}

/// An APP2 segment carrying one ICC chunk.
fn app2_chunk(number: u8, count: u8, payload: &[u8]) -> Vec<u8> {
    let len = 2 + 12 + 2 + payload.len();
    let mut seg = vec![0xFF, 0xE2, (len >> 8) as u8, (len & 0xFF) as u8];
    seg.extend_from_slice(b"ICC_PROFILE\0");
    seg.push(number);
    seg.push(count);
    seg.extend_from_slice(payload);
    seg
}

#[test]
fn test_extract_icc_reassembles_chunks_in_number_order() {
    let first: Vec<u8> = (0..100u8).collect();
    let second: Vec<u8> = (100..200u8).collect();
    let mut jpeg = vec![0xFF, 0xD8];
    // chunk 2 stored before chunk 1
    jpeg.extend(app2_chunk(2, 2, &second));
    jpeg.extend(app2_chunk(1, 2, &first));
    jpeg.extend_from_slice(&[0xFF, 0xD9]);
    let icc = extract_icc_from_jpeg(&jpeg).unwrap();
    let expected: Vec<u8> = (0..200u8).collect();
    assert_eq!(icc, expected);
}

#[test]
fn test_extract_icc_rejects_short_profiles() {
    let mut jpeg = vec![0xFF, 0xD8];
    jpeg.extend(app2_chunk(1, 1, &[7u8; 127]));
    jpeg.extend_from_slice(&[0xFF, 0xD9]);
    assert_eq!(extract_icc_from_jpeg(&jpeg), None);

    let mut jpeg = vec![0xFF, 0xD8];
    jpeg.extend(app2_chunk(1, 1, &[7u8; 128]));
    jpeg.extend_from_slice(&[0xFF, 0xD9]);
    assert_eq!(extract_icc_from_jpeg(&jpeg), Some(vec![7u8; 128]));
}

#[test]
fn test_extract_icc_without_profile() {
    assert_eq!(extract_icc_from_jpeg(&[0xFF, 0xD8, 0xFF, 0xD9]), None);
    assert_eq!(extract_icc_from_jpeg(&[0x00]), None);
}

#[test]
fn test_profile_text_to_string_forms() {
    assert_eq!(
        profile_text_to_string(ProfileDescription::Plain("abc".to_string())),
        Some("abc".to_string())
    );
    assert_eq!(
        profile_text_to_string(ProfileDescription::Localized(vec![
            "first".to_string(),
            "second".to_string()
        ])),
        Some("first".to_string())
    );
    assert_eq!(profile_text_to_string(ProfileDescription::Localized(vec![])), None);
    assert_eq!(
        profile_text_to_string(ProfileDescription::Ascii("ascii".to_string())),
        Some("ascii".to_string())
    );
}

#[test]
fn test_classify_profile_description() {
    let plain = |s: &str| Some(ProfileDescription::Plain(s.to_string()));
    assert_eq!(classify_profile_description(plain("Display P3")), SourceColorSpace::DisplayP3);
    assert_eq!(classify_profile_description(plain("DCI-P3 D65")), SourceColorSpace::DisplayP3);
    assert_eq!(classify_profile_description(plain("Adobe RGB (1998)")), SourceColorSpace::AdobeRgb);
    assert_eq!(classify_profile_description(plain("AdobeRGB")), SourceColorSpace::AdobeRgb);
    assert_eq!(classify_profile_description(plain("sRGB IEC61966-2.1")), SourceColorSpace::Srgb);
    assert_eq!(classify_profile_description(plain("IEC61966 something")), SourceColorSpace::Srgb);
    assert_eq!(classify_profile_description(plain("Camera RGB")), SourceColorSpace::Custom);
    assert_eq!(
        classify_profile_description(Some(ProfileDescription::Localized(vec![]))),
        SourceColorSpace::Custom
    );
    assert_eq!(classify_profile_description(None), SourceColorSpace::Custom);
}

#[test]
fn test_detect_color_space_of_generated_profiles() {
    assert_eq!(detect_color_space(&get_display_p3_icc()), SourceColorSpace::DisplayP3);
    assert_eq!(detect_color_space(&get_srgb_icc()), SourceColorSpace::Srgb);
}

#[test]
fn test_detect_color_space_unparseable_is_srgb() {
    assert_eq!(detect_color_space(&[1, 2, 3, 4]), SourceColorSpace::Srgb);
    assert_eq!(detect_color_space(&[]), SourceColorSpace::Srgb);
}

/// A JPEG shell with an EXIF segment whose Exif IFD holds ColorSpace = `value`.
fn jpeg_with_exif_color_space(value: u16) -> Vec<u8> {
    let mut tiff: Vec<u8> = vec![b'I', b'I', 0x2A, 0x00, 0x08, 0x00, 0x00, 0x00];
    // IFD0: one entry, the Exif IFD pointer (LONG) to offset 26
    tiff.extend_from_slice(&[0x01, 0x00]);
    tiff.extend_from_slice(&[0x69, 0x87, 0x04, 0x00, 0x01, 0x00, 0x00, 0x00, 26, 0x00, 0x00, 0x00]);
    tiff.extend_from_slice(&[0x00, 0x00, 0x00, 0x00]);
    // Exif IFD: ColorSpace (SHORT)
    tiff.extend_from_slice(&[0x01, 0x00]);
    tiff.extend_from_slice(&[0x01, 0xA0, 0x03, 0x00, 0x01, 0x00, 0x00, 0x00]);
    tiff.extend_from_slice(&value.to_le_bytes());
    tiff.extend_from_slice(&[0x00, 0x00]);
    tiff.extend_from_slice(&[0x00, 0x00, 0x00, 0x00]);
    let len = 2 + 6 + tiff.len();
    let mut jpeg = vec![0xFF, 0xD8, 0xFF, 0xE1, (len >> 8) as u8, (len & 0xFF) as u8];
    jpeg.extend_from_slice(b"Exif\0\0");
    jpeg.extend(tiff);
    jpeg.extend_from_slice(&[0xFF, 0xD9]);
    jpeg
}

#[test]
fn test_exif_color_space() {
    assert_eq!(
        detect_color_space_from_exif(&jpeg_with_exif_color_space(2)),
        Some(SourceColorSpace::AdobeRgb)
    );
    assert_eq!(
        detect_color_space_from_exif(&jpeg_with_exif_color_space(1)),
        Some(SourceColorSpace::Srgb)
    );
    assert_eq!(detect_color_space_from_exif(&jpeg_with_exif_color_space(0xFFFF)), None);
    assert_eq!(detect_color_space_from_exif(&[0xFF, 0xD8, 0xFF, 0xD9]), None);
}

#[test]
fn test_extract_color_info_prefers_icc_then_exif() {
    let info = extract_color_info(&jpeg_with_exif_color_space(2));
    assert_eq!(info.space, SourceColorSpace::AdobeRgb);
    assert!(info.icc_profile.is_none());

    let p3 = get_display_p3_icc();
    let mut jpeg = vec![0xFF, 0xD8];
    jpeg.extend(app2_chunk(1, 1, &p3));
    jpeg.extend_from_slice(&[0xFF, 0xD9]);
    let info = extract_color_info(&jpeg);
    assert_eq!(info.space, SourceColorSpace::DisplayP3);
    assert_eq!(info.icc_profile, Some(p3));

    let info = extract_color_info(&[0xFF, 0xD8, 0xFF, 0xD9]);
    assert_eq!(info.space, SourceColorSpace::Srgb);
    assert!(info.icc_profile.is_none());
}

#[test]
fn test_color_transformer_needs_transform() {
    let srgb = ColorSpaceInfo::default();
    let t = ColorTransformer::new(&srgb, false).unwrap();
    assert!(!t.needs_transform());
    assert!(!t.is_p3_output());
    let t = ColorTransformer::new(&srgb, true).unwrap();
    assert!(t.needs_transform());
    assert!(t.is_p3_output());
    let p3 = ColorSpaceInfo { space: SourceColorSpace::DisplayP3, icc_profile: None };
    assert!(!ColorTransformer::new(&p3, true).unwrap().needs_transform());
    let bad = ColorSpaceInfo { space: SourceColorSpace::Custom, icc_profile: Some(vec![1, 2, 3]) };
    assert!(ColorTransformer::new(&bad, true).is_err());
}

#[test]
fn test_color_transform_keeps_length_and_tail() {
    let info = ColorSpaceInfo { space: SourceColorSpace::AdobeRgb, icc_profile: None };
    let t = ColorTransformer::new(&info, false).unwrap();
    let mut pixels: Vec<u8> = vec![10, 200, 30, 255, 40, 50, 60, 128, 1, 2];
    t.transform_rgba8(&mut pixels, 2).unwrap();
    assert_eq!(pixels.len(), 10);
    // bytes past the last whole row are untouched
    assert_eq!(&pixels[8..], &[1, 2]);
    assert!(t.dest_icc_profile().unwrap().len() >= 132);
}

#[test]
fn test_color_transform_rgb8() {
    let info = ColorSpaceInfo { space: SourceColorSpace::AdobeRgb, icc_profile: None };
    let t = ColorTransformer::new(&info, true).unwrap();
    assert!(t.needs_transform());
    let mut pixels: Vec<u8> = vec![255, 0, 0, 0, 255, 0, 5];
    t.transform_rgb8(&mut pixels, 2).unwrap();
    assert_eq!(pixels.len(), 7);
    assert_eq!(pixels[6], 5);
}

#[test]
fn test_bytes_after_sos_do_not_matter() {
    let payload: Vec<u8> = (0..130u8).collect();
    let mut head = vec![0xFF, 0xD8];
    head.extend(app2_chunk(1, 1, &payload));
    head.extend_from_slice(&[0xFF, 0xDA]);
    let mut a = head.clone();
    a.extend_from_slice(&[0x00, 0x11, 0x22]);
    let mut b = head.clone();
    b.extend(app2_chunk(1, 1, &[9u8; 200]));
    assert_eq!(extract_icc_from_jpeg(&a), Some(payload.clone()));
    assert_eq!(extract_icc_from_jpeg(&a), extract_icc_from_jpeg(&b));
}

fn without_date(icc: &[u8]) -> Vec<u8> {
    let mut v = icc[..24].to_vec();
    v.extend_from_slice(&icc[36..]);
    v
}

#[test]
fn test_standard_profiles_are_fixed_but_for_the_date() {
    let p3 = get_display_p3_icc();
    let srgb = get_srgb_icc();
    assert_eq!(without_date(&p3), without_date(&get_display_p3_icc()));
    assert_eq!(without_date(&srgb), without_date(&get_srgb_icc()));
    assert_ne!(without_date(&p3), without_date(&srgb));
    assert_eq!(&p3[36..40], b"acsp");
    assert_eq!(u32::from_be_bytes([p3[0], p3[1], p3[2], p3[3]]) as usize, p3.len());
}

#[test]
fn test_dest_icc_profile_is_the_target_standard() {
    let srgb = ColorSpaceInfo { space: SourceColorSpace::Srgb, icc_profile: Some(get_srgb_icc()) };
    let to_p3 = ColorTransformer::new(&srgb, true).unwrap();
    assert_eq!(without_date(&to_p3.dest_icc_profile().unwrap()), without_date(&get_display_p3_icc()));
    let p3 = ColorSpaceInfo { space: SourceColorSpace::DisplayP3, icc_profile: Some(get_display_p3_icc()) };
    let to_srgb = ColorTransformer::new(&p3, false).unwrap();
    assert_eq!(without_date(&to_srgb.dest_icc_profile().unwrap()), without_date(&get_srgb_icc()));
}

#[test]
fn test_color_transform_keeps_alpha_of_rgb_sources() {
    let alphas = [255u8, 128, 0, 7, 64, 200];
    let original: Vec<u8> = alphas.iter().enumerate().flat_map(|(i, &a)| [i as u8 * 40, 90, 200 - i as u8, a]).collect();
    let from_icc = ColorSpaceInfo { space: SourceColorSpace::Srgb, icc_profile: Some(get_srgb_icc()) };
    let built_in = ColorSpaceInfo { space: SourceColorSpace::AdobeRgb, icc_profile: None };
    for info in [from_icc, built_in] {
        let t = ColorTransformer::new(&info, true).unwrap();
        let mut pixels = original.clone();
        t.transform_rgba8(&mut pixels, 3).unwrap();
        let kept: Vec<u8> = pixels.chunks(4).map(|p| p[3]).collect();
        assert_eq!(kept, alphas.to_vec());
        assert_ne!(pixels, original);
    }
}
