//! Per-iteration decisions of the receive loop.
//!
//! Each iteration reads a 4-byte length prefix, reads that many payload
//! bytes, decodes them, and presents the frame. The unverified shell
//! performs the reads and the presentation; the functions here take
//! what came back and decide what happens next.

use vstd::prelude::*;

use crate::codec::decode_frame;
use crate::codec::decoded_image;
use crate::errors::TransportError;
use crate::frame::Frame;
use crate::wire::MAX_PAYLOAD_LEN;
use crate::wire::be32;
use crate::wire::u32_from_be;

verus! {

/// What one socket read attempt came to, as the shell reports it: the
/// requested bytes, a transient "no data yet" condition, or a failure
/// (the peer closing included).
pub enum ReadOutcome {
    Data(Vec<u8>),
    WouldBlock,
    Failed,
}

/// The decision after reading a length prefix.
pub enum LengthStep {
    /// Read exactly this many payload bytes next.
    ReadPayload(u32),
    /// Transient: keep the window responsive and retry after a short
    /// delay; not a failure.
    Idle,
    /// Fatal: terminate the session with this error.
    Fail(TransportError),
}

/// Decide from a length-prefix read what to do next. A declared length
/// above the protocol maximum is a protocol violation, refused before
/// any payload byte is read; a read failure mid-prefix is a connection
/// error, and no frame reaches the display.
pub fn handle_length_read(outcome: ReadOutcome) -> (r: LengthStep)
    requires
        outcome matches ReadOutcome::Data(b) ==> b@.len() == 4,
    ensures
        match outcome {
            ReadOutcome::Data(b) => {
                let n = be32(b@[0], b@[1], b@[2], b@[3]);
                &&& n > MAX_PAYLOAD_LEN ==> r == LengthStep::Fail(
                    TransportError::ProtocolViolation,
                )
                &&& n <= MAX_PAYLOAD_LEN ==> r == LengthStep::ReadPayload(n)
            },
            ReadOutcome::WouldBlock => r == LengthStep::Idle,
            ReadOutcome::Failed => r == LengthStep::Fail(TransportError::Connection),
        },
{
    match outcome {
        ReadOutcome::Data(b) => {
            let n = u32_from_be(b[0], b[1], b[2], b[3]);
            if n > MAX_PAYLOAD_LEN {
                LengthStep::Fail(TransportError::ProtocolViolation)
            } else {
                LengthStep::ReadPayload(n)
            }
        },
        ReadOutcome::WouldBlock => LengthStep::Idle,
        ReadOutcome::Failed => LengthStep::Fail(TransportError::Connection),
    }
}

/// The decision after reading a payload.
pub enum PayloadStep {
    /// Decode these bytes.
    Decode(Vec<u8>),
    /// Fatal: terminate the session with this error.
    Fail(TransportError),
}

/// Decide from a payload read what to do next. Anything short of the
/// declared byte count — a transient condition included — is a fatal
/// connection error: there is no partial-frame recovery, and no partial
/// frame ever reaches the display.
pub fn handle_payload_read(expected: u32, outcome: ReadOutcome) -> (r: PayloadStep)
    ensures
        match outcome {
            ReadOutcome::Data(b) => {
                &&& b@.len() == expected ==> r == PayloadStep::Decode(b)
                &&& b@.len() != expected ==> r == PayloadStep::Fail(TransportError::Connection)
            },
            ReadOutcome::WouldBlock => r == PayloadStep::Fail(TransportError::Connection),
            ReadOutcome::Failed => r == PayloadStep::Fail(TransportError::Connection),
        },
{
    match outcome {
        ReadOutcome::Data(b) => {
            if b.len() == expected as usize {
                PayloadStep::Decode(b)
            } else {
                PayloadStep::Fail(TransportError::Connection)
            }
        },
        ReadOutcome::WouldBlock => PayloadStep::Fail(TransportError::Connection),
        ReadOutcome::Failed => PayloadStep::Fail(TransportError::Connection),
    }
}

/// Whether the receive loop may keep using its window.
pub enum WindowGate {
    KeepPresenting,
    StopClosed,
}

/// Check the display sink's report, taken before presenting into the
/// window and while idling between frames. A window the user closed
/// ends the receive loop cleanly — a user-initiated stop, not an
/// error; an open window keeps the session going.
pub fn check_window(open: bool) -> (r: WindowGate)
    ensures
        open <==> r is KeepPresenting,
        !open <==> r is StopClosed,
{
    if open {
        WindowGate::KeepPresenting
    } else {
        WindowGate::StopClosed
    }
}

/// The decision after decoding a payload.
pub enum DisplayStep {
    /// First frame of the session: create the window at the frame's
    /// resolution, then present it.
    CreateAndShow(Frame),
    /// Present into the existing window.
    Show(Frame),
    /// Fatal: terminate the session with this error.
    Fail(TransportError),
}

/// Receiver-side session state: the display resolution, fixed by the
/// first decoded frame and never changed for the rest of the session.
pub struct ReceiverSession {
    pub resolution: Option<(u32, u32)>,
}

impl ReceiverSession {
    /// A fresh session: no window yet, resolution still open.
    pub fn new() -> (r: ReceiverSession)
        ensures
            r.resolution is None,
    {
        ReceiverSession { resolution: None }
    }

    /// Decide what to do with a decoded frame. The first frame fixes
    /// the session's resolution and creates the window; a later frame
    /// whose resolution differs from the fixed one is a protocol
    /// violation, never silently scaled or presented.
    pub fn handle_decoded(&mut self, frame: Frame) -> (r: DisplayStep)
        ensures
            old(self).resolution is None ==> (r matches DisplayStep::CreateAndShow(f) && f
                == frame && final(self).resolution == Some((frame.width, frame.height))),
            old(self).resolution matches Some(res) ==> {
                &&& final(self).resolution == old(self).resolution
                &&& res == (frame.width, frame.height) ==> (r matches DisplayStep::Show(f) && f
                    == frame)
                &&& res != (frame.width, frame.height) ==> r == DisplayStep::Fail(
                    TransportError::ProtocolViolation,
                )
            },
    {
        match self.resolution {
            None => {
                self.resolution = Some((frame.width, frame.height));
                DisplayStep::CreateAndShow(frame)
            },
            Some((w, h)) => {
                if w == frame.width && h == frame.height {
                    DisplayStep::Show(frame)
                } else {
                    DisplayStep::Fail(TransportError::ProtocolViolation)
                }
            },
        }
    }

    /// Decode one well-framed payload and decide what to do with it:
    /// the whole post-read half of an iteration. A payload the codec
    /// refuses is fatal before the session state changes; otherwise the
    /// decoded frame goes through the resolution check above.
    pub fn process_payload(&mut self, payload: &Vec<u8>) -> (r: DisplayStep)
        ensures
            decoded_image(payload@) is None ==> (r == DisplayStep::Fail(TransportError::Codec)
                && final(self).resolution == old(self).resolution),
            decoded_image(payload@) matches Some(img) ==> {
                &&& old(self).resolution is None ==> (r matches DisplayStep::CreateAndShow(f)
                    && f.width == img.0 && f.height == img.1 && f.pixels@ == img.2
                    && final(self).resolution == Some((img.0, img.1)))
                &&& old(self).resolution matches Some(res) ==> {
                    &&& final(self).resolution == old(self).resolution
                    &&& res == (img.0, img.1) ==> (r matches DisplayStep::Show(f) && f.width
                        == img.0 && f.height == img.1 && f.pixels@ == img.2)
                    &&& res != (img.0, img.1) ==> r == DisplayStep::Fail(
                        TransportError::ProtocolViolation,
                    )
                }
            },
    {
        match decode_frame(payload) {
            Ok(frame) => self.handle_decoded(frame),
            Err(e) => DisplayStep::Fail(e),
        }
    }
}

} // verus!
