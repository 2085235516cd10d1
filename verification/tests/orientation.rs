use imgcrsh::orientation::{apply_orientation, Orientation};

#[test]
fn test_orientation_from_value() {
    assert_eq!(Orientation::from_exif_value(1), Orientation::Normal);
    assert_eq!(Orientation::from_exif_value(6), Orientation::Rotate90Cw);
    assert_eq!(Orientation::from_exif_value(8), Orientation::Rotate90Ccw);
    assert_eq!(Orientation::from_exif_value(99), Orientation::Normal);
}

#[test]
fn test_needs_transform() {
    assert!(!Orientation::Normal.needs_transform());
    assert!(Orientation::Rotate90Cw.needs_transform());
    assert!(Orientation::FlipHorizontal.needs_transform());
}

#[test]
fn test_swaps_dimensions() {
    assert!(!Orientation::Normal.swaps_dimensions());
    assert!(!Orientation::Rotate180.swaps_dimensions());
    assert!(Orientation::Rotate90Cw.swaps_dimensions());
    assert!(Orientation::Rotate90Ccw.swaps_dimensions());
}

#[test]
fn test_flip_horizontal() {
    let rgba = vec![255, 0, 0, 255, 0, 255, 0, 255];
    let (result, w, h) = apply_orientation(&rgba, 2, 1, Orientation::FlipHorizontal).unwrap();
    assert_eq!(w, 2);
    assert_eq!(h, 1);
    assert_eq!(&result[0..4], &[0, 255, 0, 255]);
    assert_eq!(&result[4..8], &[255, 0, 0, 255]);
}

#[test]
fn test_rotate_90_cw() {
    let rgba = vec![255, 0, 0, 255, 0, 255, 0, 255];
    let (result, w, h) = apply_orientation(&rgba, 2, 1, Orientation::Rotate90Cw).unwrap();
    assert_eq!(w, 1);
    assert_eq!(h, 2);
    assert_eq!(&result[0..4], &[255, 0, 0, 255]);
    assert_eq!(&result[4..8], &[0, 255, 0, 255]);
}

use imgcrsh::orientation::{extract_orientation, orientation_from_exif_values};

/// A JPEG shell with an EXIF segment whose IFD0 holds Orientation = `value`.
fn jpeg_with_exif_orientation(value: u16) -> Vec<u8> {
    let mut tiff: Vec<u8> = vec![b'M', b'M', 0x00, 0x2A, 0x00, 0x00, 0x00, 0x08];
    tiff.extend_from_slice(&[0x00, 0x01]);
    tiff.extend_from_slice(&[0x01, 0x12, 0x00, 0x03, 0x00, 0x00, 0x00, 0x01]);
    tiff.extend_from_slice(&value.to_be_bytes());
    tiff.extend_from_slice(&[0x00, 0x00]);
    tiff.extend_from_slice(&[0x00, 0x00, 0x00, 0x00]);
    let len = 2 + 6 + tiff.len();
    let mut jpeg = vec![0xFF, 0xD8, 0xFF, 0xE1, (len >> 8) as u8, (len & 0xFF) as u8];
    jpeg.extend_from_slice(b"Exif\0\0");
    jpeg.extend(tiff);
    jpeg.extend_from_slice(&[0xFF, 0xD9]);
    jpeg
}

#[test]
fn test_extract_orientation_from_exif() {
    assert_eq!(extract_orientation(&jpeg_with_exif_orientation(6)), Orientation::Rotate90Cw);
    assert_eq!(extract_orientation(&jpeg_with_exif_orientation(3)), Orientation::Rotate180);
    assert_eq!(extract_orientation(&jpeg_with_exif_orientation(42)), Orientation::Normal);
    assert_eq!(extract_orientation(&[0xFF, 0xD8, 0xFF, 0xD9]), Orientation::Normal);
    assert_eq!(extract_orientation(b"not an image"), Orientation::Normal);
}

#[test]
fn test_orientation_from_exif_values() {
    assert_eq!(orientation_from_exif_values(Some(vec![8, 1])), Orientation::Rotate90Ccw);
    assert_eq!(orientation_from_exif_values(Some(vec![])), Orientation::Normal);
    assert_eq!(orientation_from_exif_values(None), Orientation::Normal);
}

#[test]
fn test_exif_values_round_trip() {
    for value in 1..=8u16 {
        let o = Orientation::from_exif_value(value);
        let back = match o {
            Orientation::Normal => 1,
            Orientation::FlipHorizontal => 2,
            Orientation::Rotate180 => 3,
            Orientation::FlipVertical => 4,
            Orientation::Rotate90CwFlipH => 5,
            Orientation::Rotate90Cw => 6,
            Orientation::Rotate90CcwFlipH => 7,
            Orientation::Rotate90Ccw => 8,
        };
        assert_eq!(back, value);
    }
}

/// A 3x2 image whose pixels are all distinct.
fn sample_image() -> Vec<u8> {
    (0..6u8).flat_map(|p| [p, p * 10, p * 20, 255]).collect()
}

#[test]
fn test_orientation_then_inverse_is_identity() {
    let all = [
        (Orientation::Normal, Orientation::Normal),
        (Orientation::FlipHorizontal, Orientation::FlipHorizontal),
        (Orientation::Rotate180, Orientation::Rotate180),
        (Orientation::FlipVertical, Orientation::FlipVertical),
        (Orientation::Rotate90CwFlipH, Orientation::Rotate90CwFlipH),
        (Orientation::Rotate90Cw, Orientation::Rotate90Ccw),
        (Orientation::Rotate90CcwFlipH, Orientation::Rotate90CcwFlipH),
        (Orientation::Rotate90Ccw, Orientation::Rotate90Cw),
    ];
    let image = sample_image();
    for (o, inverse) in all {
        let (once, w, h) = apply_orientation(&image, 3, 2, o).unwrap();
        assert_eq!(once.len(), image.len());
        if o.swaps_dimensions() {
            assert_eq!((w, h), (2, 3));
        } else {
            assert_eq!((w, h), (3, 2));
        }
        let (twice, w2, h2) = apply_orientation(&once, w, h, inverse).unwrap();
        assert_eq!((w2, h2), (3, 2));
        assert_eq!(twice, image);
    }
}

#[test]
fn test_rotate_180_and_flip_vertical() {
    let image = sample_image();
    let (rotated, _, _) = apply_orientation(&image, 3, 2, Orientation::Rotate180).unwrap();
    // the last pixel comes first
    assert_eq!(&rotated[0..4], &image[20..24]);
    let (flipped, _, _) = apply_orientation(&image, 3, 2, Orientation::FlipVertical).unwrap();
    // rows swap
    assert_eq!(&flipped[0..12], &image[12..24]);
    assert_eq!(&flipped[12..24], &image[0..12]);
}

#[test]
fn test_rotate_90_ccw() {
    // 2x1: red, green -> 1x2: green on top, red below
    let rgba = vec![255, 0, 0, 255, 0, 255, 0, 255];
    let (result, w, h) = apply_orientation(&rgba, 2, 1, Orientation::Rotate90Ccw).unwrap();
    assert_eq!((w, h), (1, 2));
    assert_eq!(&result[0..4], &[0, 255, 0, 255]);
    assert_eq!(&result[4..8], &[255, 0, 0, 255]);
}
