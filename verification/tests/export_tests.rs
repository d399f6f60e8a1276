use ricture::clipboard::wl_copy_command;
use ricture::image::can_crop;
use ricture::notify::{copied_notification, failure_notification, notification, saved_notification};
use ricture::cli::{is_fullscreen, screenshot_path};
use ricture::export::{decode_png, encode_png, png_round_trip, PngError};
use ricture::image::Screenshot;

#[test]
fn png_starts_with_signature_and_is_not_the_pixels() {
    let s = Screenshot { width: 2, height: 1, rgba: vec![255, 0, 0, 255, 0, 255, 0, 255] };
    let png = encode_png(&s).unwrap();
    assert_eq!(&png[..8], &[137, 80, 78, 71, 13, 10, 26, 10]);
    assert_ne!(png, s.rgba);
    assert_eq!(&png[png.len() - 8..png.len() - 4], b"IEND");
}

#[test]
fn png_refuses_empty_and_mismatched_images() {
    let empty = Screenshot { width: 0, height: 3, rgba: vec![] };
    assert_eq!(encode_png(&empty).err(), Some(PngError::Format));
    let short = Screenshot { width: 2, height: 2, rgba: vec![0; 12] };
    assert_eq!(encode_png(&short).err(), Some(PngError::Parameter));
}

#[test]
fn fullscreen_flag() {
    let args = |v: &[&str]| v.iter().map(|s| s.to_string()).collect::<Vec<_>>();
    assert!(is_fullscreen(&args(&["ricture", "--fullscreen"])));
    assert!(!is_fullscreen(&args(&["ricture"])));
    assert!(!is_fullscreen(&args(&["ricture", "--full"])));
    assert!(!is_fullscreen(&args(&["ricture", "x", "--fullscreen"])));
}

#[test]
fn save_path_is_built() {
    assert_eq!(screenshot_path("/home/me/Pictures", "2024-01-02_03-04-05"), "/home/me/Pictures/2024-01-02_03-04-05.png");
}

#[test]
fn notifications_carry_the_text() {
    let n = notification("a", "b");
    assert_eq!((n.app_name.as_str(), n.replaces_id, n.app_icon.as_str()), ("ricture", 0, ""));
    assert_eq!((n.summary.as_str(), n.body.as_str(), n.expire_timeout), ("a", "b", -1));
    assert_eq!(saved_notification("/x.png").body, "/x.png");
    assert_eq!(saved_notification("/x.png").summary, "Screenshot saved");
    assert_eq!(copied_notification().body, "Image copied to clipboard");
    assert_eq!(failure_notification("boom").summary, "ricture failed");
}

#[test]
fn crop_checks() {
    let s = Screenshot { width: 2, height: 2, rgba: vec![0; 16] };
    assert!(can_crop(&s, 0, 0, 2, 2));
    assert!(can_crop(&s, 1, 1, 1, 1));
    assert!(!can_crop(&s, 1, 1, 2, 1));
    assert!(can_crop(&s, 5, 5, 0, 0));
}

#[test]
fn png_header_records_size_and_format() {
    let s = Screenshot { width: 258, height: 3, rgba: vec![7; 4 * 258 * 3] };
    let png = encode_png(&s).unwrap();
    assert_eq!(&png[8..16], &[0, 0, 0, 13, 73, 72, 68, 82]);
    assert_eq!(&png[16..20], &[0, 0, 1, 2]);
    assert_eq!(&png[20..24], &[0, 0, 0, 3]);
    assert_eq!(&png[24..29], &[8, 6, 0, 0, 0]);
    assert_eq!(&png[png.len() - 12..], &[0, 0, 0, 0, 73, 69, 78, 68, 0xAE, 0x42, 0x60, 0x82]);
}

#[test]
fn copying_runs_wl_copy_with_the_image() {
    let c = wl_copy_command(&[1, 2, 3]);
    assert_eq!(c.program, "wl-copy");
    assert_eq!(c.args, vec!["--type".to_string(), "image/png".to_string()]);
    assert_eq!(c.stdin, vec![1, 2, 3]);
}

#[test]
fn notifications_go_to_the_desktop_service() {
    let n = notification("a", "b");
    assert_eq!(n.destination, "org.freedesktop.Notifications");
    assert_eq!(n.object_path, "/org/freedesktop/Notifications");
    assert_eq!(n.interface, "org.freedesktop.Notifications");
    assert_eq!(n.member, "Notify");
    assert!(n.no_reply_expected);
    assert!(n.actions.is_empty());
    assert!(n.hints.is_empty());
}

#[test]
fn decoding_the_png_gives_the_screenshot_back() {
    let rgba: Vec<u8> = (0..4 * 5 * 3).map(|i| (i * 7 % 256) as u8).collect();
    let s = Screenshot { width: 5, height: 3, rgba: rgba.clone() };
    let back = decode_png(&encode_png(&s).unwrap()).unwrap();
    assert_eq!((back.width, back.height), (5, 3));
    assert_eq!(back.rgba, rgba);
    let again = png_round_trip(&s).unwrap();
    assert_eq!((again.width, again.height, again.rgba), (5, 3, rgba));
}

#[test]
fn decoding_refuses_other_data() {
    assert!(decode_png(&[1, 2, 3]).is_none());
    assert!(decode_png(&[]).is_none());
    let mut rgb = Vec::new();
    {
        let mut encoder = png::Encoder::new(&mut rgb, 1, 1);
        encoder.set_color(png::ColorType::Rgb);
        encoder.set_depth(png::BitDepth::Eight);
        encoder.write_header().unwrap().write_image_data(&[1, 2, 3]).unwrap();
    }
    assert!(decode_png(&rgb).is_none());
}
