use vstd::prelude::*;
use crate::convert::{Buffer, ConvertError, ShmFormat, to_rgba, conversion_of, convertible};
use crate::image::Screenshot;

verus! {

/// What the compositor reports about a screencopy frame.
#[derive(Clone, Copy, Debug, PartialEq, Eq, Structural)]
pub enum FrameEvent {
    /// A shared-memory buffer layout that the compositor can copy into.
    Buffer { format: ShmFormat, width: u32, height: u32, stride: u32 },
    /// All buffer layouts have been announced.
    BufferDone,
    /// The frame has been copied into the client's buffer.
    Ready,
    /// Any other frame event (flags, damage, dma-buf layouts, failure).
    Other,
}

/// What the client does in answer to a frame event.
#[derive(Clone, Copy, Debug, PartialEq, Eq, Structural)]
pub enum FrameAction {
    Nothing,
    /// Allocate a shared-memory buffer of this layout and ask the compositor
    /// to copy the frame into it.
    CopyInto(Buffer),
}

/// The progress of a single-frame capture.
pub struct CaptureState {
    /// The last buffer layout announced.
    pub buffer: Option<Buffer>,
    /// Whether the frame has been copied.
    pub capture_done: bool,
}

/// The capture's progress (last layout, whether the frame has been copied)
/// after one frame event: a layout replaces the remembered one, readiness
/// ends the capture, every other event leaves the progress as it was.
pub open spec fn after_frame_event(buffer: Option<Buffer>, done: bool, event: FrameEvent) -> (Option<Buffer>, bool) {
    match event {
        FrameEvent::Buffer { format, width, height, stride } => (
            Some(Buffer { format, width: width as i32, height: height as i32, stride: stride as i32 }),
            done,
        ),
        FrameEvent::Ready => (buffer, true),
        _ => (buffer, done),
    }
}

/// The capture's progress after a run of frame events, taken in order.
pub open spec fn after_frame_events(buffer: Option<Buffer>, done: bool, events: Seq<FrameEvent>) -> (
    Option<Buffer>,
    bool,
)
    decreases events.len(),
{
    if events.len() == 0 {
        (buffer, done)
    } else {
        let next = after_frame_event(buffer, done, events[0]);
        after_frame_events(next.0, next.1, events.drop_first())
    }
}

/// Once the frame has been copied, no run of further events makes the
/// capture unfinished again; and a run that contains a readiness event ends
/// the capture, whatever came before it.
pub proof fn law_capture_done_is_final(buffer: Option<Buffer>, done: bool, events: Seq<FrameEvent>)
    ensures
        done ==> after_frame_events(buffer, done, events).1,
        events.contains(FrameEvent::Ready) ==> after_frame_events(buffer, done, events).1,
    decreases events.len(),
{
    if events.len() > 0 {
        let next = after_frame_event(buffer, done, events[0]);
        law_capture_done_is_final(next.0, next.1, events.drop_first());
        if events.contains(FrameEvent::Ready) && events[0] != FrameEvent::Ready {
            let k = choose|k: int| 0 <= k < events.len() && events[k] == FrameEvent::Ready;
            assert(k != 0);
            assert(events.drop_first()[k - 1] == FrameEvent::Ready);
            assert(events.drop_first().contains(FrameEvent::Ready));
        }
    }
}

impl CaptureState {
    /// A capture that has heard nothing yet.
    pub fn new() -> (r: CaptureState)
        ensures
            r.buffer is None,
            !r.capture_done,
    {
        CaptureState { buffer: None, capture_done: false }
    }

    /// Takes one frame event: a buffer layout is remembered (the last one
    /// wins; its sizes are kept as the protocol's signed 32-bit values), the
    /// end of the announcements asks for a copy into the remembered layout,
    /// and readiness ends the capture. Other events change nothing. Once the
    /// capture has ended it stays ended, and only the end of the
    /// announcements sends a request.
    pub fn on_frame_event(&mut self, event: FrameEvent) -> (action: FrameAction)
        requires
            event is BufferDone ==> old(self).buffer is Some,
        ensures
            match event {
                FrameEvent::Buffer { format, width, height, stride } => {
                    &&& final(self).buffer == Some(
                        Buffer { format, width: width as i32, height: height as i32, stride: stride as i32 },
                    )
                    &&& final(self).capture_done == old(self).capture_done
                    &&& action == FrameAction::Nothing
                },
                FrameEvent::BufferDone => {
                    &&& final(self).buffer == old(self).buffer
                    &&& final(self).capture_done == old(self).capture_done
                    &&& action == FrameAction::CopyInto(old(self).buffer->0)
                },
                FrameEvent::Ready => {
                    &&& final(self).buffer == old(self).buffer
                    &&& final(self).capture_done
                    &&& action == FrameAction::Nothing
                },
                FrameEvent::Other => {
                    &&& final(self).buffer == old(self).buffer
                    &&& final(self).capture_done == old(self).capture_done
                    &&& action == FrameAction::Nothing
                },
            },
            (final(self).buffer, final(self).capture_done) == after_frame_event(
                old(self).buffer,
                old(self).capture_done,
                event,
            ),
            old(self).capture_done ==> final(self).capture_done,
            !(event is BufferDone) ==> action == FrameAction::Nothing,
    {
        match event {
            FrameEvent::Buffer { format, width, height, stride } => {
                self.buffer = Some(
                    Buffer { format, width: width as i32, height: height as i32, stride: stride as i32 },
                );
                FrameAction::Nothing
            },
            FrameEvent::BufferDone => {
                let b = self.buffer.unwrap();
                FrameAction::CopyInto(b)
            },
            FrameEvent::Ready => {
                self.capture_done = true;
                FrameAction::Nothing
            },
            FrameEvent::Other => FrameAction::Nothing,
        }
    }
}

/// The size in bytes of the shared memory for a buffer layout: one stride
/// per row.
pub fn shm_pool_size(buffer: &Buffer) -> (size: usize)
    requires
        buffer.stride >= 0,
        buffer.height >= 0,
        buffer.stride * buffer.height <= usize::MAX,
    ensures
        size == buffer.stride * buffer.height,
{
    (buffer.stride as usize) * (buffer.height as usize)
}

/// Turns the captured frame into an RGBA image, once the compositor has
/// copied it: `pixels` is the shared memory of the announced layout.
pub fn capture_first_output(state: &CaptureState, pixels: &[u8]) -> (r: Result<Screenshot, ConvertError>)
    requires
        state.buffer matches Some(b) && convertible(b, pixels@.len() as int),
    ensures
        conversion_of(state.buffer->0, pixels@, r),
        r matches Ok(shot) ==> shot.wf(),
{
    let buffer = state.buffer.unwrap();
    to_rgba(&buffer, pixels)
}

} // verus!
