//! Terminal error classes of a transport session.

use vstd::prelude::*;

verus! {

/// Why a sender or receiver session ended, when it did not end cleanly.
///
/// Transient conditions (capture not ready, no data yet) are absorbed
/// inside the loops and never surface here; a clean stop (cancellation
/// observed, or the display window closed by the user) is reported as
/// success, not as one of these.
#[derive(Clone, Copy, Debug, PartialEq, Eq, Structural)]
pub enum TransportError {
    /// A connect, read or write failure, the peer closing included;
    /// never retried.
    Connection,
    /// A declared frame length above the protocol maximum, or a frame
    /// whose decoded resolution differs from the session's fixed one.
    ProtocolViolation,
    /// An encode or decode failure on an otherwise well-framed payload;
    /// fatal, so the displayed state never silently diverges.
    Codec,
}

impl TransportError {
    /// A short description for user-facing reporting.
    pub fn describe(&self) -> (r: &'static str)
        ensures
            self is Connection ==> r@ == "connection failed"@,
            self is ProtocolViolation ==> r@ == "protocol violation"@,
            self is Codec ==> r@ == "codec failure"@,
    {
        match self {
            TransportError::Connection => "connection failed",
            TransportError::ProtocolViolation => "protocol violation",
            TransportError::Codec => "codec failure",
        }
    }
}

} // verus!
