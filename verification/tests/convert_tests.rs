use ricture::convert::can_convert;
use ricture::convert::{rgba_to_bgra, to_rgba, Buffer, ConvertError, ShmFormat};

fn frame() -> Vec<u8> {
    // two rows of two pixels, stride 12 (4 bytes of padding per row)
    vec![
        1, 2, 3, 4, 5, 6, 7, 8, 0, 0, 0, 0, //
        9, 10, 11, 12, 13, 14, 15, 16, 0, 0, 0, 0,
    ]
}

#[test]
fn argb_frame_becomes_rgba() {
    let b = Buffer { format: ShmFormat::Argb8888, width: 2, height: 2, stride: 12 };
    let s = to_rgba(&b, &frame()).unwrap();
    assert_eq!((s.width, s.height), (2, 2));
    assert_eq!(s.rgba, vec![3, 2, 1, 4, 7, 6, 5, 8, 11, 10, 9, 12, 15, 14, 13, 16]);
}

#[test]
fn xrgb_frame_gets_opaque_alpha() {
    let b = Buffer { format: ShmFormat::Xrgb8888, width: 2, height: 2, stride: 12 };
    let s = to_rgba(&b, &frame()).unwrap();
    assert_eq!(s.rgba, vec![3, 2, 1, 255, 7, 6, 5, 255, 11, 10, 9, 255, 15, 14, 13, 255]);
}

#[test]
fn unknown_format_is_refused() {
    let b = Buffer { format: ShmFormat::Unknown(0xdead), width: 2, height: 2, stride: 12 };
    assert_eq!(to_rgba(&b, &frame()).err(), Some(ConvertError::UnknownFormat(0xdead)));
}

#[test]
fn other_format_is_refused_when_not_empty() {
    let b = Buffer { format: ShmFormat::Other(0x20203843), width: 2, height: 2, stride: 12 };
    assert_eq!(to_rgba(&b, &frame()).err(), Some(ConvertError::UnsupportedFormat(0x20203843)));
}

#[test]
fn other_format_with_empty_frame_gives_empty_image() {
    let b = Buffer { format: ShmFormat::Other(7), width: 0, height: 2, stride: 0 };
    let s = to_rgba(&b, &[]).unwrap();
    assert_eq!((s.width, s.height), (0, 2));
    assert!(s.rgba.is_empty());
}

#[test]
fn bgra_swaps_red_and_blue() {
    assert_eq!(rgba_to_bgra(&[1, 2, 3, 4, 5, 6, 7, 8, 9]), vec![3, 2, 1, 4, 7, 6, 5, 8]);
}

#[test]
fn bgra_twice_is_identity() {
    let px = vec![10, 20, 30, 40, 50, 60, 70, 80];
    assert_eq!(rgba_to_bgra(&rgba_to_bgra(&px)), px);
}

#[test]
fn bgra_frame_converts_back() {
    let rgba = vec![10, 20, 30, 40, 50, 60, 70, 80, 1, 2, 3, 4, 5, 6, 7, 8];
    let frame = rgba_to_bgra(&rgba);
    let b = Buffer { format: ShmFormat::Argb8888, width: 2, height: 2, stride: 8 };
    assert_eq!(to_rgba(&b, &frame).unwrap().rgba, rgba);
}

#[test]
fn conversion_checks() {
    let b = Buffer { format: ShmFormat::Argb8888, width: 2, height: 2, stride: 12 };
    assert!(can_convert(&b, 20));
    assert!(!can_convert(&b, 19));
    let x = Buffer { format: ShmFormat::Xrgb8888, width: 2, height: 2, stride: 12 };
    assert!(can_convert(&x, 19));
    let neg = Buffer { format: ShmFormat::Argb8888, width: -1, height: 2, stride: 12 };
    assert!(!can_convert(&neg, 100));
    let other = Buffer { format: ShmFormat::Other(5), width: 4, height: 4, stride: 16 };
    assert!(can_convert(&other, 3));
    assert!(!can_convert(&other, 2));
}

#[test]
fn negative_width_with_no_rows_gives_empty_image() {
    let b = Buffer { format: ShmFormat::Argb8888, width: -1, height: 0, stride: 0 };
    assert!(can_convert(&b, 0));
    let s = to_rgba(&b, &[]).unwrap();
    assert_eq!((s.width, s.height), (u32::MAX, 0));
    assert!(s.rgba.is_empty());
}

#[test]
fn negative_height_with_no_columns_gives_empty_image() {
    let b = Buffer { format: ShmFormat::Xrgb8888, width: 0, height: -1, stride: 0 };
    assert!(can_convert(&b, 0));
    let s = to_rgba(&b, &[]).unwrap();
    assert_eq!((s.width, s.height), (0, u32::MAX));
    assert!(s.rgba.is_empty());
}
