use vstd::prelude::*;
use crate::registry::ClipboardGlobals;

verus! {

/// Why the clipboard cannot be taken over.
#[derive(Clone, Copy, Debug, PartialEq, Eq, Structural)]
pub enum ClipboardError {
    /// The compositor advertises no seat.
    NoSeat,
    /// The compositor does not offer the wlr data-control protocol.
    NoDataControl,
}

impl ClipboardError {
    /// The message shown for the error.
    pub fn message(&self) -> (r: String)
        ensures
            r@ == match self {
                ClipboardError::NoSeat => "compositor has no wl_seat"@,
                ClipboardError::NoDataControl => "compositor doesn't support zwlr_data_control_manager_v1"@,
            },
    {
        match self {
            ClipboardError::NoSeat => String::from_str("compositor has no wl_seat"),
            ClipboardError::NoDataControl => String::from_str(
                "compositor doesn't support zwlr_data_control_manager_v1",
            ),
        }
    }
}

/// What the clipboard owner offers: one MIME type and the bytes served for it.
pub struct ClipboardOffer {
    pub mime_type: String,
    pub payload: Vec<u8>,
}

/// Prepares the clipboard selection for a PNG image: the seat is needed
/// first, then the data-control manager; the selection offers the bytes as
/// `image/png`.
pub fn copy_to_clipboard(globals: &ClipboardGlobals, png: &[u8]) -> (r: Result<ClipboardOffer, ClipboardError>)
    ensures
        globals.seat is None ==> r == Err::<ClipboardOffer, ClipboardError>(ClipboardError::NoSeat),
        globals.seat is Some && globals.manager is None ==> r == Err::<ClipboardOffer, ClipboardError>(
            ClipboardError::NoDataControl,
        ),
        globals.seat is Some && globals.manager is Some ==> (r matches Ok(offer) && offer.mime_type@
            == "image/png"@ && offer.payload@ == png@),
{
    if globals.seat.is_none() {
        return Err(ClipboardError::NoSeat);
    }
    if globals.manager.is_none() {
        return Err(ClipboardError::NoDataControl);
    }
    let mut payload: Vec<u8> = Vec::new();
    let mut i: usize = 0;
    while i < png.len()
        invariant
            i <= png@.len(),
            payload@ == png@.take(i as int),
        decreases png@.len() - i,
    {
        payload.push(png[i]);
        i += 1;
        proof {
            assert(payload@ =~= png@.take(i as int));
        }
    }
    proof {
        assert(png@.take(png@.len() as int) =~= png@);
    }
    Ok(ClipboardOffer { mime_type: String::from_str("image/png"), payload })
}

/// The result of one attempt to write to the requesting client's pipe.
#[derive(Clone, Copy, Debug, PartialEq, Eq, Structural)]
pub enum WriteOutcome {
    /// This many bytes were written.
    Wrote(usize),
    /// The pipe is full for now.
    WouldBlock,
    /// Any other error.
    Failed,
}

/// What to do next while serving the selection to a client.
#[derive(Clone, Copy, Debug, PartialEq, Eq, Structural)]
pub enum WriteStep {
    /// Write the bytes from this offset on.
    WriteFrom(usize),
    /// Wait until the pipe can take more, then write from this offset on.
    WaitThenWriteFrom(usize),
    /// Everything has been written.
    Finished,
    /// Give up on this client.
    Abort,
}

/// The first step of serving `len` bytes: nothing to do for an empty payload.
pub fn first_write_step(len: usize) -> (step: WriteStep)
    ensures
        step == if len == 0 { WriteStep::Finished } else { WriteStep::WriteFrom(0) },
{
    if len == 0 {
        WriteStep::Finished
    } else {
        WriteStep::WriteFrom(0)
    }
}

/// The next step after a write attempt at offset `written` of a `len`-byte
/// payload: progress moves the offset on (and ends once everything is
/// written), a full pipe waits and retries at the same offset, any other
/// error abandons the client.
pub fn next_write_step(len: usize, written: usize, outcome: WriteOutcome) -> (step: WriteStep)
    requires
        written < len,
        outcome matches WriteOutcome::Wrote(n) ==> n <= len - written,
    ensures
        step == match outcome {
            WriteOutcome::Wrote(n) => if written + n == len {
                WriteStep::Finished
            } else {
                WriteStep::WriteFrom((written + n) as usize)
            },
            WriteOutcome::WouldBlock => WriteStep::WaitThenWriteFrom(written),
            WriteOutcome::Failed => WriteStep::Abort,
        },
{
    match outcome {
        WriteOutcome::Wrote(n) => {
            let w = written + n;
            if w == len {
                WriteStep::Finished
            } else {
                WriteStep::WriteFrom(w)
            }
        },
        WriteOutcome::WouldBlock => WriteStep::WaitThenWriteFrom(written),
        WriteOutcome::Failed => WriteStep::Abort,
    }
}

/// What the compositor says to the owner of the selection.
#[derive(Clone, Copy, Debug, PartialEq, Eq, Structural)]
pub enum SourceEvent {
    /// A client asks for the data.
    Send,
    /// Another client took the selection over.
    Cancelled,
    /// Anything else.
    Other,
}

/// What the selection owner does in answer.
#[derive(Clone, Copy, Debug, PartialEq, Eq, Structural)]
pub enum SourceAction {
    /// Serve the whole payload to the requesting client.
    ServePayload,
    /// Destroy the source and stop.
    DestroyAndStop,
    Nothing,
}

/// Decides the answer to a selection event: requests are served, a
/// cancellation ends the ownership.
pub fn on_source_event(event: SourceEvent) -> (action: SourceAction)
    ensures
        action == match event {
            SourceEvent::Send => SourceAction::ServePayload,
            SourceEvent::Cancelled => SourceAction::DestroyAndStop,
            SourceEvent::Other => SourceAction::Nothing,
        },
{
    match event {
        SourceEvent::Send => SourceAction::ServePayload,
        SourceEvent::Cancelled => SourceAction::DestroyAndStop,
        SourceEvent::Other => SourceAction::Nothing,
    }
}

/// An external command to run: the program, its arguments, and the bytes
/// written to its standard input.
pub struct CopyCommand {
    pub program: String,
    pub args: Vec<String>,
    pub stdin: Vec<u8>,
}

/// How the program puts a PNG image on the clipboard: it runs
/// `wl-copy --type image/png` with the image on the command's standard input.
pub fn wl_copy_command(png: &[u8]) -> (r: CopyCommand)
    ensures
        r.program@ == "wl-copy"@,
        r.args@.len() == 2,
        r.args@[0]@ == "--type"@,
        r.args@[1]@ == "image/png"@,
        r.stdin@ == png@,
{
    let mut args: Vec<String> = Vec::new();
    args.push(String::from_str("--type"));
    args.push(String::from_str("image/png"));
    CopyCommand { program: String::from_str("wl-copy"), args, stdin: vstd::slice::slice_to_vec(png) }
}

} // verus!
