use ricture::image::{crop, Screenshot};

fn shot(width: u32, height: u32) -> Screenshot {
    let mut rgba = Vec::new();
    for i in 0..(width * height * 4) {
        rgba.push((i % 251) as u8);
    }
    Screenshot { width, height, rgba }
}

#[test]
fn crop_takes_the_rectangle_row_by_row() {
    let s = shot(3, 3);
    let c = crop(&s, 1, 1, 2, 2);
    assert_eq!(c.width, 2);
    assert_eq!(c.height, 2);
    // row 1 starts at byte 12, column 1 at +4; row 2 starts at byte 24.
    let expected: Vec<u8> = (16..24).chain(28..36).map(|v| v as u8).collect();
    assert_eq!(c.rgba, expected);
}

#[test]
fn crop_of_full_size_is_identity() {
    let s = shot(4, 2);
    let c = crop(&s, 0, 0, 4, 2);
    assert_eq!(c.rgba, s.rgba);
    assert_eq!((c.width, c.height), (4, 2));
}

#[test]
fn crop_of_a_crop_is_one_crop() {
    let s = shot(6, 5);
    let inner = crop(&s, 1, 1, 4, 3);
    let twice = crop(&inner, 2, 1, 2, 2);
    let once = crop(&s, 3, 2, 2, 2);
    assert_eq!(twice.rgba, once.rgba);
}

#[test]
fn crop_with_zero_size_is_empty() {
    let s = shot(3, 3);
    assert!(crop(&s, 1, 1, 0, 2).rgba.is_empty());
    assert!(crop(&s, 1, 1, 2, 0).rgba.is_empty());
}

#[test]
fn crop_single_pixel() {
    let s = shot(2, 2);
    let c = crop(&s, 1, 1, 1, 1);
    assert_eq!(c.rgba, vec![12, 13, 14, 15]);
}
