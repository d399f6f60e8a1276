use ricture::overlay::{configured_size, exit_action, frame_bytes, key_exit, plan_frame, Action, ExitFlag, Key};
use ricture::render::undim_rect;
use ricture::selection::Selection;

#[test]
fn keys_map_to_exits() {
    assert_eq!(key_exit(Key::Escape, false), Some(ExitFlag::Cancelled));
    assert_eq!(key_exit(Key::Return, false), Some(ExitFlag::Copy));
    assert_eq!(key_exit(Key::Space, true), Some(ExitFlag::Copy));
    assert_eq!(key_exit(Key::Char('c'), true), Some(ExitFlag::Copy));
    assert_eq!(key_exit(Key::Char('s'), true), Some(ExitFlag::Save));
    assert_eq!(key_exit(Key::Char('s'), false), None);
    assert_eq!(key_exit(Key::Other, true), None);
}

#[test]
fn exits_map_to_actions() {
    assert_eq!(exit_action(Some(ExitFlag::Copy)), Some(Action::Copy));
    assert_eq!(exit_action(Some(ExitFlag::Save)), Some(Action::Save));
    assert_eq!(exit_action(Some(ExitFlag::Cancelled)), None);
    assert_eq!(exit_action(None), None);
}

#[test]
fn configure_falls_back_to_full_hd() {
    assert_eq!(configured_size(0, 0), (1920, 1080));
    assert_eq!(configured_size(2560, 0), (2560, 1080));
    assert_eq!(configured_size(800, 600), (800, 600));
    assert_eq!(frame_bytes(800, 600), 1_920_000);
}

#[test]
fn frames_are_planned() {
    assert_eq!(plan_frame(false, false, Some((1, 2, 3, 4)), 10, 10), None);
    assert_eq!(plan_frame(false, true, Some((1, 2, 3, 4)), 10, 10), Some((1, 2, 3, 4)));
    assert_eq!(plan_frame(true, false, Some((1, 2, 3, 4)), 10, 20), Some((0, 0, 10, 20)));
    assert_eq!(plan_frame(false, true, None, 10, 20), Some((0, 0, 10, 20)));
}

#[test]
fn dragging_updates_the_selection() {
    let mut s: Selection<(f64, f64)> = Selection::new();
    assert_eq!(s.endpoints(), None);
    assert!(!s.changed());
    s.motion((1.0, 1.0));
    assert_eq!(s.current, None);
    s.press((2.0, 3.0));
    assert!(s.is_dragging);
    assert!(s.changed());
    s.motion((5.0, 7.0));
    assert_eq!(s.endpoints(), Some(((2.0, 3.0), (5.0, 7.0))));
    s.mark_drawn();
    assert!(!s.changed());
    s.release((6.0, 8.0));
    assert!(!s.is_dragging);
    assert!(s.changed());
    s.motion((9.0, 9.0));
    assert_eq!(s.current, Some((6.0, 8.0)));
}

#[test]
fn undim_copies_only_the_rectangle() {
    // 3 x 2 image, four bytes per pixel
    let shot: Vec<u8> = (0..24).collect();
    let mut pixmap = vec![0u8; 24];
    undim_rect(&mut pixmap, &shot, 3, 1, 1, 3, 2);
    let mut expected = vec![0u8; 24];
    for i in 16..24 {
        expected[i] = i as u8;
    }
    assert_eq!(pixmap, expected);
    let mut untouched = vec![7u8; 24];
    undim_rect(&mut untouched, &shot, 3, 2, 0, 2, 2);
    assert_eq!(untouched, vec![7u8; 24]);
}
