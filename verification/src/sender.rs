//! Per-iteration decisions of the capture-and-send loop.
//!
//! Each iteration captures a frame, encodes it, and writes the framed
//! blob to the connection as one unit. The unverified shell performs
//! the capture and the write; the functions here take what came back
//! and decide what happens next.

use vstd::prelude::*;

use crate::codec::encode_frame;
use crate::codec::png_encoding;
use crate::errors::TransportError;
use crate::frame::Frame;
use crate::wire::MAX_PAYLOAD_LEN;
use crate::wire::frame_payload;
use crate::wire::wire_frame;

verus! {

/// How many consecutive transient "not ready yet" capture attempts the
/// sender absorbs (each followed by a short fixed delay) before it
/// treats the capture source as failed.
pub const MAX_TRANSIENT_CAPTURES: u32 = 600;

/// What one capture attempt came to, as the shell reports it: a raw
/// frame, a transient "not ready yet" condition, or a failure.
pub enum CaptureOutcome {
    Captured(Frame),
    NotReady,
    Failed,
}

/// The decision after a capture attempt.
pub enum CaptureStep {
    /// Encode and send this frame.
    Encode(Frame),
    /// Transient: sleep a short fixed interval and retry, carrying the
    /// new count of consecutive transient attempts; not a failure.
    RetryAfterDelay(u32),
    /// Fatal: terminate the session with this error.
    Fail(TransportError),
}

/// Decide from a capture attempt what to do next. Transient conditions
/// are absorbed by bounded retry, invisible to the controller; only a
/// long run of them, or a real capture failure, ends the session.
pub fn handle_capture(outcome: CaptureOutcome, transient_count: u32) -> (r: CaptureStep)
    ensures
        match outcome {
            CaptureOutcome::Captured(f) => r == CaptureStep::Encode(f),
            CaptureOutcome::NotReady => {
                &&& transient_count + 1 < MAX_TRANSIENT_CAPTURES ==> r
                    == CaptureStep::RetryAfterDelay((transient_count + 1) as u32)
                &&& transient_count + 1 >= MAX_TRANSIENT_CAPTURES ==> r == CaptureStep::Fail(
                    TransportError::Connection,
                )
            },
            CaptureOutcome::Failed => r == CaptureStep::Fail(TransportError::Connection),
        },
{
    match outcome {
        CaptureOutcome::Captured(f) => CaptureStep::Encode(f),
        CaptureOutcome::NotReady => {
            if transient_count < MAX_TRANSIENT_CAPTURES - 1 {
                CaptureStep::RetryAfterDelay(transient_count + 1)
            } else {
                CaptureStep::Fail(TransportError::Connection)
            }
        },
        CaptureOutcome::Failed => CaptureStep::Fail(TransportError::Connection),
    }
}

/// The consecutive-transient counter to carry into the next iteration:
/// a successful capture resets the run of transient attempts to zero,
/// a transient one carries the advanced count from the retry decision,
/// and after a fatal step the loop is over, so the counter returns to
/// its starting value.
pub fn next_transient_count(step: &CaptureStep) -> (r: u32)
    ensures
        step is Encode ==> r == 0,
        step matches CaptureStep::RetryAfterDelay(count) ==> r == count,
        step is Fail ==> r == 0,
{
    match step {
        CaptureStep::Encode(_) => 0,
        CaptureStep::RetryAfterDelay(count) => *count,
        CaptureStep::Fail(_) => 0,
    }
}

/// Encode a captured frame and frame the blob for the wire: exactly the
/// bytes the sender writes, as one unit, for this frame. An encoder
/// refusal is a fatal codec error; a blob over the protocol bound is a
/// protocol violation the sender refuses to emit.
pub fn prepare_wire_bytes(frame: &Frame) -> (r: Result<Vec<u8>, TransportError>)
    requires
        frame.valid(),
    ensures
        match r {
            Ok(b) => (png_encoding(frame.width, frame.height, frame.pixels@) matches Some(blob)
                && blob.len() <= MAX_PAYLOAD_LEN && b@ == wire_frame(blob)),
            Err(e) => (e == TransportError::Codec && png_encoding(
                frame.width,
                frame.height,
                frame.pixels@,
            ) is None) || (e == TransportError::ProtocolViolation && (png_encoding(
                frame.width,
                frame.height,
                frame.pixels@,
            ) matches Some(blob) && blob.len() > MAX_PAYLOAD_LEN)),
        },
{
    let blob = match encode_frame(frame) {
        Ok(b) => b,
        Err(e) => {
            return Err(e);
        },
    };
    frame_payload(&blob)
}

} // verus!
