use ricture::capture::{capture_first_output, shm_pool_size, CaptureState, FrameAction, FrameEvent};
use ricture::clipboard::{
    copy_to_clipboard, first_write_step, next_write_step, on_source_event, ClipboardError, SourceAction,
    SourceEvent, WriteOutcome, WriteStep,
};
use ricture::convert::{Buffer, ConvertError, ShmFormat};
use ricture::registry::{clipboard_globals, list_globals, BoundGlobal, ClipboardGlobals, Global};

fn g(name: u32, interface: &str, version: u32) -> Global {
    Global { name, interface: interface.to_string(), version }
}

#[test]
fn capture_globals_are_bound_at_capped_versions() {
    let gs = vec![
        g(1, "wl_compositor", 6),
        g(2, "wl_output", 9),
        g(3, "wl_shm", 1),
        g(4, "wl_output", 2),
        g(5, "zwlr_screencopy_manager_v1", 7),
        g(6, "wl_shm", 9),
    ];
    let r = list_globals(&gs);
    assert_eq!(r.outputs, vec![BoundGlobal { name: 2, version: 4 }, BoundGlobal { name: 4, version: 2 }]);
    assert_eq!(r.shm, Some(BoundGlobal { name: 6, version: 3 }));
    assert_eq!(r.screencopy_manager, Some(BoundGlobal { name: 5, version: 3 }));
}

#[test]
fn no_globals_bind_nothing() {
    let r = list_globals(&vec![]);
    assert!(r.outputs.is_empty());
    assert_eq!(r.shm, None);
    assert_eq!(r.screencopy_manager, None);
}

#[test]
fn clipboard_globals_are_bound() {
    let gs = vec![g(1, "wl_seat", 20), g(2, "zwlr_data_control_manager_v1", 9), g(3, "wl_output", 1)];
    let r = clipboard_globals(&gs);
    assert_eq!(r.seat, Some(BoundGlobal { name: 1, version: 11 }));
    assert_eq!(r.manager, Some(BoundGlobal { name: 2, version: 2 }));
}

#[test]
fn frame_events_drive_the_capture() {
    let mut st = CaptureState::new();
    let a = st.on_frame_event(FrameEvent::Buffer { format: ShmFormat::Xrgb8888, width: 2, height: 1, stride: 8 });
    assert_eq!(a, FrameAction::Nothing);
    let b = Buffer { format: ShmFormat::Xrgb8888, width: 2, height: 1, stride: 8 };
    assert_eq!(st.on_frame_event(FrameEvent::BufferDone), FrameAction::CopyInto(b));
    assert!(!st.capture_done);
    assert_eq!(st.on_frame_event(FrameEvent::Other), FrameAction::Nothing);
    assert_eq!(st.on_frame_event(FrameEvent::Ready), FrameAction::Nothing);
    assert!(st.capture_done);
    assert_eq!(shm_pool_size(&b), 8);
    let shot = capture_first_output(&st, &[1, 2, 3, 0, 4, 5, 6, 0]).unwrap();
    assert_eq!(shot.rgba, vec![3, 2, 1, 255, 6, 5, 4, 255]);
}

#[test]
fn last_buffer_layout_wins() {
    let mut st = CaptureState::new();
    st.on_frame_event(FrameEvent::Buffer { format: ShmFormat::Argb8888, width: 1, height: 1, stride: 4 });
    st.on_frame_event(FrameEvent::Buffer { format: ShmFormat::Unknown(99), width: 1, height: 1, stride: 4 });
    assert_eq!(capture_first_output(&st, &[0, 0, 0, 0]).err(), Some(ConvertError::UnknownFormat(99)));
}

#[test]
fn clipboard_needs_a_seat_first() {
    let none = ClipboardGlobals { seat: None, manager: None };
    assert_eq!(copy_to_clipboard(&none, &[1]).err(), Some(ClipboardError::NoSeat));
    let seat_only = ClipboardGlobals { seat: Some(BoundGlobal { name: 1, version: 1 }), manager: None };
    assert_eq!(copy_to_clipboard(&seat_only, &[1]).err(), Some(ClipboardError::NoDataControl));
    assert_eq!(ClipboardError::NoSeat.message(), "compositor has no wl_seat");
    assert_eq!(
        ClipboardError::NoDataControl.message(),
        "compositor doesn't support zwlr_data_control_manager_v1"
    );
}

#[test]
fn clipboard_offers_png() {
    let both = ClipboardGlobals {
        seat: Some(BoundGlobal { name: 1, version: 1 }),
        manager: Some(BoundGlobal { name: 2, version: 2 }),
    };
    let offer = copy_to_clipboard(&both, &[137, 80, 78]).ok().unwrap();
    assert_eq!(offer.mime_type, "image/png");
    assert_eq!(offer.payload, vec![137, 80, 78]);
}

#[test]
fn serving_the_payload() {
    assert_eq!(first_write_step(0), WriteStep::Finished);
    assert_eq!(first_write_step(10), WriteStep::WriteFrom(0));
    assert_eq!(next_write_step(10, 0, WriteOutcome::Wrote(4)), WriteStep::WriteFrom(4));
    assert_eq!(next_write_step(10, 4, WriteOutcome::WouldBlock), WriteStep::WaitThenWriteFrom(4));
    assert_eq!(next_write_step(10, 4, WriteOutcome::Wrote(6)), WriteStep::Finished);
    assert_eq!(next_write_step(10, 4, WriteOutcome::Failed), WriteStep::Abort);
    assert_eq!(on_source_event(SourceEvent::Send), SourceAction::ServePayload);
    assert_eq!(on_source_event(SourceEvent::Cancelled), SourceAction::DestroyAndStop);
    assert_eq!(on_source_event(SourceEvent::Other), SourceAction::Nothing);
}

#[test]
fn finished_capture_stays_finished() {
    let mut st = CaptureState::new();
    st.on_frame_event(FrameEvent::Ready);
    assert!(st.capture_done);
    st.on_frame_event(FrameEvent::Buffer { format: ShmFormat::Argb8888, width: 1, height: 1, stride: 4 });
    st.on_frame_event(FrameEvent::Other);
    st.on_frame_event(FrameEvent::BufferDone);
    assert!(st.capture_done);
}
